//! The metadata tree of a JSON document: one `ObjectMeta` per value, in
//! document order, linked to its parent and to its neighbouring siblings.
use vstd::prelude::*;

verus! {

/// The kind of a JSON value.
///
/// A container starts out `EmptyArray` / `EmptyStructure` and becomes
/// `Array` / `Structure` as soon as its first child is read.
#[derive(Debug, Clone, Copy, PartialEq, Eq, Structural)]
pub enum ObjectType {
    String,
    Bool,
    Number,
    EmptyArray,
    EmptyStructure,
    Array,
    Structure,
    Null,
}

/// How a value is reached from its parent: by the key of a structure member
/// (`start` and `len` locate the quoted key in the source, quotes included,
/// and `len` is never zero), or by its position in an array.
#[derive(Debug, Clone, Copy, PartialEq, Eq, Structural)]
pub enum NameOrIndex {
    Name { start: usize, len: u32 },
    Index(u64),
}

/// Position of an `ObjectMeta` in a `JsonMetadata` list.
#[derive(Debug, Clone, Copy, PartialEq, Eq, Structural)]
pub struct JsonMetadataIndex(pub u32);

/// Everything the viewer knows of one JSON value.
#[derive(Debug, Clone, Copy, PartialEq, Eq, Structural)]
pub struct ObjectMeta {
    pub name_or_index: NameOrIndex,
    pub ty: ObjectType,
    pub source_start: usize,
    pub source_len: usize,
    pub parent: Option<JsonMetadataIndex>,
    pub prev: Option<JsonMetadataIndex>,
    pub next: Option<JsonMetadataIndex>,
    pub expanded: bool,
}

impl JsonMetadataIndex {
    /// Wraps a list position; positions beyond `u32::MAX` do not fit.
    pub fn new(index: usize) -> (r: Self)
        requires
            index <= u32::MAX,
        ensures
            r.0 == index,
    {
        JsonMetadataIndex(index as u32)
    }

    /// The list position this index stands for.
    pub fn get(self) -> (r: usize)
        ensures
            r == self.0,
    {
        self.0 as usize
    }
}

/// A container that has at least one child.
pub open spec fn is_filled_container(ty: ObjectType) -> bool {
    ty == ObjectType::Array || ty == ObjectType::Structure
}

/// Any container, empty or not.
pub open spec fn is_container(ty: ObjectType) -> bool {
    ||| ty == ObjectType::Array
    ||| ty == ObjectType::Structure
    ||| ty == ObjectType::EmptyArray
    ||| ty == ObjectType::EmptyStructure
}

/// The links of a metadata list form a forest laid out in document order:
/// parents and previous siblings come earlier, next siblings later, the two
/// sibling links agree, siblings share their parent, and the first child of
/// a filled container directly follows it.
pub open spec fn wf_list(l: Seq<ObjectMeta>) -> bool {
    &&& l.len() <= u32::MAX + 1
    &&& forall|i: int|
        0 <= i < l.len() ==> #[trigger] node_wf(l, i)
}

pub open spec fn node_wf(l: Seq<ObjectMeta>, i: int) -> bool {
    let m = l[i];
    &&& (m.parent matches Some(p) ==> {
        &&& p.0 < i
        &&& is_filled_container(l[p.0 as int].ty)
    })
    &&& (m.prev matches Some(q) ==> {
        &&& q.0 < i
        &&& l[q.0 as int].next == Some(JsonMetadataIndex(i as u32))
        &&& l[q.0 as int].parent == m.parent
    })
    &&& (m.next matches Some(r) ==> {
        &&& i < r.0 < l.len()
        &&& l[r.0 as int].prev == Some(JsonMetadataIndex(i as u32))
    })
    &&& (is_filled_container(m.ty) ==> {
        &&& i + 1 < l.len()
        &&& l[i + 1].parent == Some(JsonMetadataIndex(i as u32))
        &&& l[i + 1].prev.is_none()
    })
    &&& (m.parent matches Some(p) ==> (m.prev.is_none() ==> i == p.0 + 1))
}

/// The metadata of a whole document, one entry per value, in document order.
pub struct JsonMetadata {
    pub list: Vec<ObjectMeta>,
}

impl View for JsonMetadata {
    type V = Seq<ObjectMeta>;

    open spec fn view(&self) -> Seq<ObjectMeta> {
        self.list@
    }
}

/// The value shown after `i` when the document is walked in order, skipping
/// the children of collapsed containers.
pub open spec fn spec_next_visible(l: Seq<ObjectMeta>, i: int) -> Option<JsonMetadataIndex> {
    if is_filled_container(l[i].ty) && l[i].expanded {
        Some(JsonMetadataIndex((i + 1) as u32))
    } else {
        spec_next_no_children(l, i)
    }
}

/// The next sibling of `i`, or else of its nearest ancestor that has one.
pub open spec fn spec_next_no_children(l: Seq<ObjectMeta>, i: int) -> Option<JsonMetadataIndex>
    decreases i,
{
    if i < 0 {
        None
    } else {
        match l[i].next {
            Some(n) => Some(n),
            None => match l[i].parent {
                None => None,
                Some(p) => if p.0 < i {
                    spec_next_no_children(l, p.0 as int)
                } else {
                    None
                },
            },
        }
    }
}

/// The last sibling on the chain of next-links that starts at `j`.
pub open spec fn spec_last_sibling(l: Seq<ObjectMeta>, j: int) -> int
    decreases l.len() - j,
{
    match l[j].next {
        Some(n) => if j < n.0 < l.len() {
            spec_last_sibling(l, n.0 as int)
        } else {
            j
        },
        None => j,
    }
}

/// The last value shown inside `i`: `i` itself unless it is an expanded
/// filled container, else the last shown value of its last child.
pub open spec fn spec_last_in_childrens(l: Seq<ObjectMeta>, i: int) -> int
    decreases l.len() - i,
{
    if is_filled_container(l[i].ty) && l[i].expanded && i + 1 < l.len() {
        let last = spec_last_sibling(l, i + 1);
        if i < last < l.len() {
            spec_last_in_childrens(l, last)
        } else {
            i
        }
    } else {
        i
    }
}

/// The value shown before `i`.
pub open spec fn spec_prev_visible(l: Seq<ObjectMeta>, i: int) -> Option<JsonMetadataIndex> {
    match l[i].prev {
        Some(q) => Some(JsonMetadataIndex(spec_last_in_childrens(l, q.0 as int) as u32)),
        None => l[i].parent,
    }
}

/// The number of ancestors of `i`.
pub open spec fn spec_depth(l: Seq<ObjectMeta>, i: int) -> nat
    decreases i,
{
    if i < 0 {
        0
    } else {
        match l[i].parent {
            None => 0,
            Some(p) => if p.0 < i {
                spec_depth(l, p.0 as int) + 1
            } else {
                0
            },
        }
    }
}

impl JsonMetadata {
    pub open spec fn wf(&self) -> bool {
        wf_list(self@)
    }

    /// Appends `value` and returns its position.
    pub fn push(&mut self, value: ObjectMeta) -> (r: JsonMetadataIndex)
        requires
            old(self)@.len() <= u32::MAX,
        ensures
            final(self)@ == old(self)@.push(value),
            r.0 == old(self)@.len(),
    {
        let i = self.list.len();
        self.list.push(value);
        JsonMetadataIndex::new(i)
    }

    /// The entry at `index`.
    pub fn index(&self, index: JsonMetadataIndex) -> (r: &ObjectMeta)
        requires
            index.0 < self@.len(),
        ensures
            *r == self@[index.0 as int],
    {
        &self.list[index.get()]
    }

    /// The value shown after `index`: the first child of an expanded filled
    /// container, else the next sibling of the value or of its nearest
    /// ancestor that has one.
    pub fn next_visible(&self, index: JsonMetadataIndex) -> (r: Option<JsonMetadataIndex>)
        requires
            self.wf(),
            index.0 < self@.len(),
        ensures
            r == spec_next_visible(self@, index.0 as int),
    {
        let object = self.list[index.get()];
        if matches!(object.ty, ObjectType::Array | ObjectType::Structure) && object.expanded {
            assert(node_wf(self@, index.0 as int));
            Some(JsonMetadataIndex::new(index.get() + 1))
        } else {
            self.next_no_children(index)
        }
    }

    /// The next sibling of `index`, or else of its nearest ancestor that has one.
    pub fn next_no_children(&self, index: JsonMetadataIndex) -> (r: Option<JsonMetadataIndex>)
        requires
            self.wf(),
            index.0 < self@.len(),
        ensures
            r == spec_next_no_children(self@, index.0 as int),
        decreases index.0,
    {
        let object = self.list[index.get()];
        assert(node_wf(self@, index.0 as int));
        if let Some(next) = object.next {
            Some(next)
        } else {
            match object.parent {
                Some(parent) => self.next_no_children(parent),
                None => None,
            }
        }
    }

    /// The value shown before `index`: the last shown value inside the
    /// previous sibling, or else the parent.
    pub fn prev_visible(&self, index: JsonMetadataIndex) -> (r: Option<JsonMetadataIndex>)
        requires
            self.wf(),
            index.0 < self@.len(),
        ensures
            r == spec_prev_visible(self@, index.0 as int),
    {
        let object = self.list[index.get()];
        assert(node_wf(self@, index.0 as int));
        if let Some(prev) = object.prev {
            Some(self.last_in_childrens(prev))
        } else {
            object.parent
        }
    }

    /// The last value shown inside `index` (the value itself when it is not
    /// an expanded filled container).
    pub fn last_in_childrens(&self, index: JsonMetadataIndex) -> (r: JsonMetadataIndex)
        requires
            self.wf(),
            index.0 < self@.len(),
        ensures
            r.0 == spec_last_in_childrens(self@, index.0 as int),
        decreases self@.len() - index.0,
    {
        let object = self.list[index.get()];
        assert(node_wf(self@, index.0 as int));
        if matches!(object.ty, ObjectType::Array | ObjectType::Structure) && object.expanded {
            {
                let mut last = JsonMetadataIndex::new(index.get() + 1);
                loop
                    invariant
                        self.wf(),
                        index.0 < last.0 < self@.len(),
                        spec_last_sibling(self@, last.0 as int) == spec_last_sibling(
                            self@,
                            index.0 + 1,
                        ),
                    ensures
                        self@[last.0 as int].next.is_none(),
                        index.0 < last.0 < self@.len(),
                        spec_last_sibling(self@, index.0 + 1) == last.0,
                    decreases self@.len() - last.0,
                {
                    assert(node_wf(self@, last.0 as int));
                    match self.list[last.get()].next {
                        Some(next) => {
                            last = next;
                        },
                        None => {
                            break;
                        },
                    }
                }
                self.last_in_childrens(last)
            }
        } else {
            index
        }
    }

    /// The number of ancestors of `index`.
    pub fn depth(&self, index: JsonMetadataIndex) -> (r: usize)
        requires
            self.wf(),
            index.0 < self@.len(),
        ensures
            r == spec_depth(self@, index.0 as int),
        decreases index.0,
    {
        assert(node_wf(self@, index.0 as int));
        if let Some(parent) = self.list[index.get()].parent {
            proof {
                lemma_depth_bound(self@, parent.0 as int);
            }
            self.depth(parent) + 1
        } else {
            0
        }
    }
}

/// In a well-formed list a value without a parent has depth 0, and any
/// other value is exactly one level deeper than its parent, whatever the
/// parent's type: the depth counts every ancestor.
pub proof fn lemma_depth_parent(l: Seq<ObjectMeta>, i: int)
    requires
        wf_list(l),
        0 <= i < l.len(),
    ensures
        l[i].parent matches Some(p) ==> spec_depth(l, i) == spec_depth(l, p.0 as int) + 1,
        l[i].parent is None ==> spec_depth(l, i) == 0,
{
    assert(node_wf(l, i));
}

/// The depth of a value never exceeds its position.
pub proof fn lemma_depth_bound(l: Seq<ObjectMeta>, i: int)
    requires
        0 <= i,
    ensures
        spec_depth(l, i) <= i,
    decreases i,
{
    if let Some(p) = l[i].parent {
        if p.0 < i {
            lemma_depth_bound(l, p.0 as int);
        }
    }
}

/// Every ancestor of `i` is expanded, so that `i` is shown.
pub open spec fn ancestors_expanded(l: Seq<ObjectMeta>, i: int) -> bool
    decreases i,
{
    if i < 0 {
        true
    } else {
        match l[i].parent {
            None => true,
            Some(p) => p.0 < i ==> (l[p.0 as int].expanded && ancestors_expanded(l, p.0 as int)),
        }
    }
}

/// Walking the sibling chain from the first child of a container reaches
/// the same last sibling as walking it from any of its children.
proof fn lemma_first_child_last_sibling(l: Seq<ObjectMeta>, c: int, p: int)
    requires
        wf_list(l),
        0 <= c < l.len(),
        0 <= p <= u32::MAX,
        l[c].parent == Some(JsonMetadataIndex(p as u32)),
    ensures
        spec_last_sibling(l, p + 1) == spec_last_sibling(l, c),
    decreases c,
{
    assert(node_wf(l, c));
    match l[c].prev {
        None => {},
        Some(q) => {
            assert(node_wf(l, q.0 as int));
            assert(spec_last_sibling(l, q.0 as int) == spec_last_sibling(l, c));
            lemma_first_child_last_sibling(l, q.0 as int, p);
        },
    }
}

/// Climbing from `x`, whose last shown value is `b`, to the next sibling
/// `j` of it or of an ancestor: the value shown before `j` is `b`.
proof fn lemma_climb(l: Seq<ObjectMeta>, x: int, b: int, j: JsonMetadataIndex)
    requires
        wf_list(l),
        0 <= x < l.len(),
        spec_last_in_childrens(l, x) == b,
        ancestors_expanded(l, x),
        spec_next_no_children(l, x) == Some(j),
    ensures
        j.0 < l.len(),
        spec_prev_visible(l, j.0 as int) == Some(JsonMetadataIndex(b as u32)),
    decreases x,
{
    assert(node_wf(l, x));
    match l[x].next {
        Some(n) => {
            assert(node_wf(l, n.0 as int));
        },
        None => {
            let p = l[x].parent.unwrap();
            let pi = p.0 as int;
            assert(node_wf(l, pi));
            lemma_first_child_last_sibling(l, x, pi);
            assert(spec_last_sibling(l, x) == x);
            assert(spec_last_in_childrens(l, pi) == spec_last_in_childrens(l, x));
            lemma_climb(l, pi, b, j);
        },
    }
}

/// Moving to the next shown value and back again returns to the start:
/// when `i` is shown and a value `j` is shown after it, the value shown
/// before `j` is `i`.
pub proof fn lemma_next_then_prev(l: Seq<ObjectMeta>, i: int)
    requires
        wf_list(l),
        0 <= i < l.len(),
        ancestors_expanded(l, i),
        spec_next_visible(l, i) is Some,
    ensures
        spec_next_visible(l, i).unwrap().0 < l.len(),
        spec_prev_visible(l, spec_next_visible(l, i).unwrap().0 as int) == Some(
            JsonMetadataIndex(i as u32),
        ),
{
    assert(node_wf(l, i));
    if is_filled_container(l[i].ty) && l[i].expanded {
        assert(node_wf(l, i + 1));
    } else {
        lemma_climb(l, i, i, spec_next_visible(l, i).unwrap());
    }
}

/// The last sibling on a chain has no next sibling, shares the parent of
/// the chain, and lies at or after its start.
proof fn lemma_last_sibling(l: Seq<ObjectMeta>, j: int)
    requires
        wf_list(l),
        0 <= j < l.len(),
    ensures
        j <= spec_last_sibling(l, j) < l.len(),
        l[spec_last_sibling(l, j)].next is None,
        l[spec_last_sibling(l, j)].parent == l[j].parent,
    decreases l.len() - j,
{
    assert(node_wf(l, j));
    match l[j].next {
        Some(n) => {
            assert(node_wf(l, n.0 as int));
            lemma_last_sibling(l, n.0 as int);
        },
        None => {},
    }
}

/// Descending from `x` to its last shown value `b`: the value shown after
/// `b` is the next sibling of `x` or of its nearest ancestor that has one.
proof fn lemma_descend(l: Seq<ObjectMeta>, x: int, j: JsonMetadataIndex)
    requires
        wf_list(l),
        0 <= x < l.len(),
        spec_next_no_children(l, x) == Some(j),
    ensures
        spec_next_visible(l, spec_last_in_childrens(l, x)) == Some(j),
    decreases l.len() - x,
{
    assert(node_wf(l, x));
    if is_filled_container(l[x].ty) && l[x].expanded {
        assert(node_wf(l, x + 1));
        lemma_last_sibling(l, x + 1);
        let last = spec_last_sibling(l, x + 1);
        assert(node_wf(l, last));
        assert(spec_next_no_children(l, last) == spec_next_no_children(l, x));
        lemma_descend(l, last, j);
    }
}

/// Moving to the previous shown value and forward again returns to the
/// start: when `j` is shown and a value `i` is shown before it, the value
/// shown after `i` is `j`.
pub proof fn lemma_prev_then_next(l: Seq<ObjectMeta>, j: int)
    requires
        wf_list(l),
        0 <= j < l.len(),
        ancestors_expanded(l, j),
        spec_prev_visible(l, j) is Some,
    ensures
        spec_prev_visible(l, j).unwrap().0 < l.len(),
        spec_next_visible(l, spec_prev_visible(l, j).unwrap().0 as int) == Some(
            JsonMetadataIndex(j as u32),
        ),
{
    assert(node_wf(l, j));
    match l[j].prev {
        Some(q) => {
            assert(node_wf(l, q.0 as int));
            lemma_descend(l, q.0 as int, JsonMetadataIndex(j as u32));
            lemma_last_in_childrens_bound(l, q.0 as int);
        },
        None => {
            let p = l[j].parent.unwrap();
            assert(node_wf(l, p.0 as int));
        },
    }
}

proof fn lemma_last_in_childrens_bound(l: Seq<ObjectMeta>, x: int)
    requires
        wf_list(l),
        0 <= x < l.len(),
    ensures
        x <= spec_last_in_childrens(l, x) < l.len(),
    decreases l.len() - x,
{
    if is_filled_container(l[x].ty) && l[x].expanded && x + 1 < l.len() {
        let last = spec_last_sibling(l, x + 1);
        if x < last < l.len() {
            lemma_last_in_childrens_bound(l, last);
        }
    }
}

} // verus!
