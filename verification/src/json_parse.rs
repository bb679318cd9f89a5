//! A single-pass reader that turns JSON text into a `JsonMetadata` list.
//!
//! The reader is lenient (commas are optional, brackets of either kind close
//! the innermost container) and stops on the inputs it does not handle. Its
//! behaviour is defined step by step by `spec_step`; `spec_parse` runs the
//! steps to the end of the input and is `None` exactly on the inputs the
//! reader rejects.
use vstd::prelude::*;
use crate::json_viewer::{
    wf_list, JsonMetadata, JsonMetadataIndex, NameOrIndex, ObjectMeta, ObjectType,
};
use crate::json_laws::{lemma_parse_wf, sources_in};
use crate::json_shape::{
    children_named, containers_marked, in_document_order, lemma_parse_laws, root_first,
    starts_with_bracket,
};

verus! {

/// Where the reader is: at the top level, inside an array (with the index of
/// the next element), or inside a structure, before or after a member key.
#[derive(Debug, Clone, Copy, PartialEq, Eq, Structural)]
pub enum ParsingState {
    InStructWithName { start: usize, len: u32 },
    InStructWithoutName,
    InArray { index: u64 },
    TopLevel,
}

/// The reader's state as a mathematical value.
pub struct ParseState {
    pub out: Seq<ObjectMeta>,
    pub cursor: int,
    pub state: ParsingState,
    pub parent: Option<JsonMetadataIndex>,
    pub prev: Option<JsonMetadataIndex>,
}

/// The reader's state: the list built so far, the read position, the
/// innermost open container and the last value read inside it.
pub struct ParsingContext {
    output: JsonMetadata,
    cursor: usize,
    state: ParsingState,
    parent: Option<JsonMetadataIndex>,
    prev: Option<JsonMetadataIndex>,
}

impl View for ParsingContext {
    type V = ParseState;

    closed spec fn view(&self) -> ParseState {
        ParseState {
            out: self.output@,
            cursor: self.cursor as int,
            state: self.state,
            parent: self.parent,
            prev: self.prev,
        }
    }
}

pub open spec fn opt_int(o: Option<usize>) -> Option<int> {
    match o {
        Some(k) => Some(k as int),
        None => None,
    }
}

/// ASCII whitespace as Rust's `u8::is_ascii_whitespace` has it.
pub open spec fn is_ws(b: u8) -> bool {
    b == 0x20 || b == 0x09 || b == 0x0a || b == 0x0c || b == 0x0d
}

pub open spec fn is_digit(b: u8) -> bool {
    0x30 <= b <= 0x39
}

/// The first position at or after `i` that does not hold whitespace, or
/// `None` when the input ends first.
pub open spec fn skip_ws_strict(c: Seq<u8>, i: int) -> Option<int>
    decreases c.len() - i,
{
    if i < 0 || i >= c.len() {
        None
    } else if is_ws(c[i]) {
        skip_ws_strict(c, i + 1)
    } else {
        Some(i)
    }
}

/// The first position at or after `i` that does not hold whitespace, or the
/// end of the input.
pub open spec fn skip_ws_lenient(c: Seq<u8>, i: int) -> int
    decreases c.len() - i,
{
    if 0 <= i < c.len() && is_ws(c[i]) {
        skip_ws_lenient(c, i + 1)
    } else {
        i
    }
}

/// The first position at or after `i` that does not hold a digit, or `None`
/// when the input ends first.
pub open spec fn digits_end(c: Seq<u8>, i: int) -> Option<int>
    decreases c.len() - i,
{
    if i < 0 || i >= c.len() {
        None
    } else if is_digit(c[i]) {
        digits_end(c, i + 1)
    } else {
        Some(i)
    }
}

/// The length of the number that starts at `i`: its first byte, then digits,
/// then optionally a dot and more digits.
pub open spec fn number_len(c: Seq<u8>, i: int) -> Option<int> {
    match digits_end(c, i + 1) {
        None => None,
        Some(e1) => if c[e1] == 0x2e {
            match digits_end(c, e1 + 1) {
                None => None,
                Some(e2) => Some(e2 - i),
            }
        } else {
            Some(e1 - i)
        },
    }
}

/// Where reading resumes after a value that ends before `i`: past one comma,
/// then past whitespace; the input must not end there.
pub open spec fn after_value(c: Seq<u8>, i: int) -> Option<int> {
    if 0 <= i < c.len() {
        skip_ws_strict(c, if c[i] == 0x2c { i + 1 } else { i })
    } else {
        None
    }
}

/// Where reading resumes after a closing bracket that ends before `i`: past
/// one comma, then past whitespace, possibly to the end of the input.
pub open spec fn after_close(c: Seq<u8>, i: int) -> int {
    skip_ws_lenient(c, if 0 <= i < c.len() && c[i] == 0x2c { i + 1 } else { i })
}

/// Scans a quoted string from position `i`, `escaped` telling whether the
/// byte before `i` was an unescaped backslash. Gives the position just past
/// the closing quote.
pub open spec fn escaped_scan(s: Seq<u8>, i: int, escaped: bool) -> Option<int>
    decreases s.len() - i,
{
    if i < 0 || i >= s.len() {
        None
    } else if s[i] == 0x5c && !escaped {
        escaped_scan(s, i + 1, true)
    } else if s[i] == 0x22 && !escaped {
        Some(i + 1)
    } else {
        escaped_scan(s, i + 1, false)
    }
}

/// The length of the quoted string that starts at `start` (its opening quote),
/// closing quote included; `None` when it is not closed.
pub open spec fn spec_escaped_len_at(s: Seq<u8>, start: int) -> Option<int> {
    if 0 <= start < s.len() {
        match escaped_scan(s, start + 1, false) {
            Some(e) => Some(e - start),
            None => None,
        }
    } else {
        None
    }
}

pub open spec fn spec_escaped_string_length(s: Seq<u8>) -> Option<int> {
    spec_escaped_len_at(s, 0)
}

/// The literal `lit` stands in `c` at position `i`.
pub open spec fn has_literal(c: Seq<u8>, i: int, lit: Seq<u8>) -> bool {
    &&& 0 <= i
    &&& i + lit.len() <= c.len()
    &&& c.subrange(i, i + lit.len()) == lit
}

pub open spec fn lit_null() -> Seq<u8> {
    seq![0x6eu8, 0x75u8, 0x6cu8, 0x6cu8]
}

pub open spec fn lit_true() -> Seq<u8> {
    seq![0x74u8, 0x72u8, 0x75u8, 0x65u8]
}

pub open spec fn lit_false() -> Seq<u8> {
    seq![0x66u8, 0x61u8, 0x6cu8, 0x73u8, 0x65u8]
}

pub open spec fn with_ty(m: ObjectMeta, ty: ObjectType) -> ObjectMeta {
    ObjectMeta { ty: ty, ..m }
}

pub open spec fn with_next(m: ObjectMeta, next: Option<JsonMetadataIndex>) -> ObjectMeta {
    ObjectMeta { next: next, ..m }
}

pub open spec fn with_source_len(m: ObjectMeta, len: usize) -> ObjectMeta {
    ObjectMeta { source_len: len, ..m }
}

/// The entry made for a value of type `ty` read at the cursor.
pub open spec fn fresh_meta(
    s: ParseState,
    name: NameOrIndex,
    ty: ObjectType,
    source_len: usize,
    expanded: bool,
) -> ObjectMeta {
    ObjectMeta {
        name_or_index: name,
        ty: ty,
        source_start: s.cursor as usize,
        source_len: source_len,
        parent: s.parent,
        prev: s.prev,
        next: None,
        expanded: expanded,
    }
}

/// Makes the entry of a new value and marks its container as filled.
pub open spec fn spec_create(s: ParseState, ty: ObjectType, source_len: usize) -> Option<
    (ObjectMeta, ParseState),
> {
    match s.state {
        ParsingState::InStructWithName { start, len } => match s.parent {
            None => None,
            Some(p) => if p.0 < s.out.len() && (s.out[p.0 as int].ty == ObjectType::EmptyStructure
                || s.out[p.0 as int].ty == ObjectType::Structure) {
                Some(
                    (
                        fresh_meta(s, NameOrIndex::Name { start, len }, ty, source_len, false),
                        ParseState {
                            out: s.out.update(
                                p.0 as int,
                                with_ty(s.out[p.0 as int], ObjectType::Structure),
                            ),
                            state: ParsingState::InStructWithoutName,
                            ..s
                        },
                    ),
                )
            } else {
                None
            },
        },
        ParsingState::InStructWithoutName => None,
        ParsingState::InArray { index } => match s.parent {
            None => None,
            Some(p) => if p.0 < s.out.len() && (s.out[p.0 as int].ty == ObjectType::EmptyArray
                || s.out[p.0 as int].ty == ObjectType::Array) && index < u64::MAX {
                Some(
                    (
                        fresh_meta(s, NameOrIndex::Index(index), ty, source_len, false),
                        ParseState {
                            out: s.out.update(
                                p.0 as int,
                                with_ty(s.out[p.0 as int], ObjectType::Array),
                            ),
                            state: ParsingState::InArray { index: (index + 1) as u64 },
                            ..s
                        },
                    ),
                )
            } else {
                None
            },
        },
        ParsingState::TopLevel => Some(
            (fresh_meta(s, NameOrIndex::Index(0), ty, source_len, true), s),
        ),
    }
}

/// A value can be read in state `s`: at the top level, after a key inside an
/// open structure, or inside an open array whose next index still fits.
pub open spec fn create_allowed(s: ParseState) -> bool {
    match s.state {
        ParsingState::InStructWithName { .. } => s.parent matches Some(p) && p.0 < s.out.len() && (
        s.out[p.0 as int].ty == ObjectType::EmptyStructure || s.out[p.0 as int].ty
            == ObjectType::Structure),
        ParsingState::InStructWithoutName => false,
        ParsingState::InArray { index } => s.parent matches Some(p) && p.0 < s.out.len() && (
        s.out[p.0 as int].ty == ObjectType::EmptyArray || s.out[p.0 as int].ty == ObjectType::Array)
            && index < u64::MAX,
        ParsingState::TopLevel => true,
    }
}

/// Appends an entry and links it after the previous sibling.
pub open spec fn spec_push(s: ParseState, meta: ObjectMeta) -> Option<(JsonMetadataIndex, ParseState)> {
    if s.out.len() > u32::MAX {
        None
    } else {
        let ni = JsonMetadataIndex(s.out.len() as u32);
        let out1 = s.out.push(meta);
        match s.prev {
            None => Some((ni, ParseState { out: out1, prev: Some(ni), ..s })),
            Some(q) => if q.0 < s.out.len() {
                Some(
                    (
                        ni,
                        ParseState {
                            out: out1.update(q.0 as int, with_next(out1[q.0 as int], Some(ni))),
                            prev: Some(ni),
                            ..s
                        },
                    ),
                )
            } else {
                None
            },
        }
    }
}

pub open spec fn spec_add(s: ParseState, ty: ObjectType, source_len: usize) -> Option<
    (JsonMetadataIndex, ParseState),
> {
    match spec_create(s, ty, source_len) {
        None => None,
        Some((meta, s1)) => spec_push(s1, meta),
    }
}

/// Reads a scalar value of `len` bytes at the cursor.
pub open spec fn spec_scalar(c: Seq<u8>, s: ParseState, ty: ObjectType, len: int) -> Option<
    ParseState,
> {
    match spec_add(s, ty, len as usize) {
        None => None,
        Some((_, s1)) => match after_value(c, s.cursor + len) {
            None => None,
            Some(k) => Some(ParseState { cursor: k, ..s1 }),
        },
    }
}

/// Reads `[` or `{` at the cursor.
pub open spec fn spec_open(c: Seq<u8>, s: ParseState, is_array: bool) -> Option<ParseState> {
    let ty = if is_array {
        ObjectType::EmptyArray
    } else {
        ObjectType::EmptyStructure
    };
    match spec_add(s, ty, 0) {
        None => None,
        Some((ni, s1)) => match skip_ws_strict(c, s.cursor + 1) {
            None => None,
            Some(k) => Some(
                ParseState {
                    out: s1.out,
                    cursor: k,
                    state: if is_array {
                        ParsingState::InArray { index: 0 }
                    } else {
                        ParsingState::InStructWithoutName
                    },
                    parent: Some(ni),
                    prev: None,
                },
            ),
        },
    }
}

/// Reads `]` or `}` at the cursor: closes the innermost open container.
pub open spec fn spec_close(c: Seq<u8>, s: ParseState) -> Option<ParseState> {
    let k = s.cursor + 1;
    match s.parent {
        None => None,
        Some(p) => if p.0 < s.out.len() && s.out[p.0 as int].source_start <= k {
            let pm = s.out[p.0 as int];
            match pm.name_or_index {
                NameOrIndex::Name { .. } => Some(
                    ParseState {
                        out: s.out.update(
                            p.0 as int,
                            with_source_len(pm, (k - pm.source_start) as usize),
                        ),
                        cursor: after_close(c, k),
                        state: ParsingState::InStructWithoutName,
                        parent: pm.parent,
                        prev: s.parent,
                    },
                ),
                NameOrIndex::Index(i) => if i < u64::MAX {
                    Some(
                        ParseState {
                            out: s.out.update(
                                p.0 as int,
                                with_source_len(pm, (k - pm.source_start) as usize),
                            ),
                            cursor: after_close(c, k),
                            state: ParsingState::InArray { index: (i + 1) as u64 },
                            parent: pm.parent,
                            prev: s.parent,
                        },
                    )
                } else {
                    None
                },
            }
        } else {
            None
        },
    }
}

/// Reads a quoted string at the cursor: a member key inside a structure that
/// waits for one, else a string value.
pub open spec fn spec_quoted(c: Seq<u8>, s: ParseState) -> Option<ParseState> {
    match spec_escaped_len_at(c, s.cursor) {
        None => None,
        Some(len) => if s.state == ParsingState::InStructWithoutName {
            let k = s.cursor + len;
            if len <= u32::MAX && 0 <= k < c.len() && c[k] == 0x3a {
                match skip_ws_strict(c, k + 1) {
                    None => None,
                    Some(k2) => Some(
                        ParseState {
                            cursor: k2,
                            state: ParsingState::InStructWithName {
                                start: s.cursor as usize,
                                len: len as u32,
                            },
                            ..s
                        },
                    ),
                }
            } else {
                None
            }
        } else {
            spec_scalar(c, s, ObjectType::String, len)
        },
    }
}

/// Reads the literal `lit` of type `ty` at the cursor.
pub open spec fn spec_literal(c: Seq<u8>, s: ParseState, lit: Seq<u8>, ty: ObjectType) -> Option<
    ParseState,
> {
    if has_literal(c, s.cursor, lit) {
        spec_scalar(c, s, ty, lit.len() as int)
    } else {
        None
    }
}

/// One step of the reader at a cursor inside the input.
pub open spec fn spec_step(c: Seq<u8>, s: ParseState) -> Option<ParseState> {
    let b = c[s.cursor];
    if b == 0x5b {
        spec_open(c, s, true)
    } else if b == 0x7b {
        spec_open(c, s, false)
    } else if b == 0x5d || b == 0x7d {
        spec_close(c, s)
    } else if b == 0x22 {
        spec_quoted(c, s)
    } else if b == 0x2d || is_digit(b) {
        match number_len(c, s.cursor) {
            None => None,
            Some(n) => spec_scalar(c, s, ObjectType::Number, n),
        }
    } else if b == 0x6e {
        spec_literal(c, s, lit_null(), ObjectType::Null)
    } else if b == 0x74 {
        spec_literal(c, s, lit_true(), ObjectType::Bool)
    } else if b == 0x66 {
        spec_literal(c, s, lit_false(), ObjectType::Bool)
    } else {
        None
    }
}

/// Runs the reader from state `s` to the end of the input.
pub open spec fn spec_run(c: Seq<u8>, s: ParseState) -> Option<ParseState>
    decreases c.len() - s.cursor,
{
    if s.cursor == c.len() {
        Some(s)
    } else if 0 <= s.cursor < c.len() {
        match spec_step(c, s) {
            None => None,
            Some(s2) => if s.cursor < s2.cursor <= c.len() {
                spec_run(c, s2)
            } else {
                None
            },
        }
    } else {
        None
    }
}

pub open spec fn initial_state() -> ParseState {
    ParseState {
        out: Seq::empty(),
        cursor: 0,
        state: ParsingState::TopLevel,
        parent: None,
        prev: None,
    }
}

/// The metadata list of `c`, or `None` when the reader rejects `c`.
pub open spec fn spec_parse(c: Seq<u8>) -> Option<Seq<ObjectMeta>> {
    match spec_run(c, initial_state()) {
        Some(s) => Some(s.out),
        None => None,
    }
}

/// `u8::is_ascii_whitespace`.
pub fn is_ascii_whitespace(b: u8) -> (r: bool)
    ensures
        r == is_ws(b),
{
    b == 0x20 || b == 0x09 || b == 0x0a || b == 0x0c || b == 0x0d
}

/// `u8::is_ascii_digit`.
pub fn is_ascii_digit(b: u8) -> (r: bool)
    ensures
        r == is_digit(b),
{
    0x30 <= b && b <= 0x39
}

fn skip_whitespace(content: &[u8], i: usize) -> (r: Option<usize>)
    ensures
        opt_int(r) == skip_ws_strict(content@, i as int),
        r matches Some(e) ==> i <= e < content@.len(),
{
    let mut j = i;
    while j < content.len()
        invariant
            i <= j,
            skip_ws_strict(content@, i as int) == skip_ws_strict(content@, j as int),
        decreases content.len() - j,
    {
        if is_ascii_whitespace(content[j]) {
            j += 1;
        } else {
            return Some(j);
        }
    }
    None
}

fn skip_whitespace_to_end(content: &[u8], i: usize) -> (r: usize)
    requires
        i <= content@.len(),
    ensures
        r == skip_ws_lenient(content@, i as int),
{
    let mut j = i;
    while j < content.len() && is_ascii_whitespace(content[j])
        invariant
            i <= j <= content@.len(),
            skip_ws_lenient(content@, i as int) == skip_ws_lenient(content@, j as int),
        decreases content.len() - j,
    {
        j += 1;
    }
    j
}

fn skip_digits(content: &[u8], i: usize) -> (r: Option<usize>)
    ensures
        opt_int(r) == digits_end(content@, i as int),
        r matches Some(e) ==> i <= e < content@.len(),
{
    let mut j = i;
    while j < content.len()
        invariant
            i <= j,
            digits_end(content@, i as int) == digits_end(content@, j as int),
        decreases content.len() - j,
    {
        if is_ascii_digit(content[j]) {
            j += 1;
        } else {
            return Some(j);
        }
    }
    None
}

fn number_length(content: &[u8], i: usize) -> (r: Option<usize>)
    requires
        i < content@.len(),
    ensures
        opt_int(r) == number_len(content@, i as int),
{
    let n = content.len();
    assert(i < n);
    match skip_digits(content, i + 1) {
        None => None,
        Some(e1) => {
            if content[e1] == 0x2e {
                match skip_digits(content, e1 + 1) {
                    None => None,
                    Some(e2) => Some(e2 - i),
                }
            } else {
                Some(e1 - i)
            }
        },
    }
}

fn after_value_exec(content: &[u8], i: usize) -> (r: Option<usize>)
    ensures
        opt_int(r) == after_value(content@, i as int),
{
    if i < content.len() {
        if content[i] == 0x2c {
            skip_whitespace(content, i + 1)
        } else {
            skip_whitespace(content, i)
        }
    } else {
        None
    }
}

fn after_close_exec(content: &[u8], i: usize) -> (r: usize)
    requires
        i <= content@.len(),
    ensures
        r == after_close(content@, i as int),
{
    if i < content.len() && content[i] == 0x2c {
        skip_whitespace_to_end(content, i + 1)
    } else {
        skip_whitespace_to_end(content, i)
    }
}

fn escaped_len_at(content: &[u8], start: usize) -> (r: Option<usize>)
    ensures
        opt_int(r) == spec_escaped_len_at(content@, start as int),
{
    if start >= content.len() {
        return None;
    }
    let mut last_backslash = false;
    let mut i = start + 1;
    while i < content.len()
        invariant
            start < i,
            start < content@.len(),
            escaped_scan(content@, start + 1, false) == escaped_scan(
                content@,
                i as int,
                last_backslash,
            ),
        decreases content.len() - i,
    {
        let b = content[i];
        if b == 0x5c && !last_backslash {
            last_backslash = true;
        } else if b == 0x22 && !last_backslash {
            return Some(i + 1 - start);
        } else {
            last_backslash = false;
        }
        i += 1;
    }
    None
}

/// Takes a string that starts with its opening quote and gives the number of
/// bytes up to and including the closing quote, a quote after an unescaped
/// backslash not counting; `None` when no closing quote is found.
pub fn find_escaped_string_length(input: &[u8]) -> (r: Option<usize>)
    ensures
        opt_int(r) == spec_escaped_string_length(input@),
{
    escaped_len_at(input, 0)
}

impl ParsingContext {
    fn new() -> (r: Self)
        ensures
            r@ == initial_state(),
    {
        let r = ParsingContext {
            output: JsonMetadata { list: Vec::new() },
            cursor: 0,
            state: ParsingState::TopLevel,
            parent: None,
            prev: None,
        };
        assert(r@.out =~= initial_state().out);
        r
    }

    /// Whether a value can be read in the current state.
    fn can_create(&self) -> (r: bool)
        ensures
            r == create_allowed(self@),
    {
        match self.state {
            ParsingState::InStructWithName { .. } => match self.parent {
                None => false,
                Some(p) => p.get() < self.output.list.len() && matches!(
                    self.output.list[p.get()].ty,
                    ObjectType::EmptyStructure | ObjectType::Structure
                ),
            },
            ParsingState::InStructWithoutName => false,
            ParsingState::InArray { index } => match self.parent {
                None => false,
                Some(p) => p.get() < self.output.list.len() && matches!(
                    self.output.list[p.get()].ty,
                    ObjectType::EmptyArray | ObjectType::Array
                ) && index < u64::MAX,
            },
            ParsingState::TopLevel => true,
        }
    }

    /// The entry of a value read in the current state; its container, if
    /// any, is marked as filled.
    fn create_object_meta(&mut self, ty: ObjectType, source_len: usize) -> (r: ObjectMeta)
        requires
            create_allowed(old(self)@),
        ensures
            spec_create(old(self)@, ty, source_len) == Some((r, final(self)@)),
    {
        match self.state {
            ParsingState::InStructWithName { start, len } => {
                let p = self.parent.unwrap();
                let mut pm = self.output.list[p.get()];
                pm.ty = ObjectType::Structure;
                self.output.list.set(p.get(), pm);
                let meta = ObjectMeta {
                    name_or_index: NameOrIndex::Name { start, len },
                    ty,
                    source_start: self.cursor,
                    source_len,
                    parent: self.parent,
                    prev: self.prev,
                    next: None,
                    expanded: false,
                };
                self.state = ParsingState::InStructWithoutName;
                meta
            },
            ParsingState::InArray { index } => {
                let p = self.parent.unwrap();
                let mut pm = self.output.list[p.get()];
                pm.ty = ObjectType::Array;
                self.output.list.set(p.get(), pm);
                let meta = ObjectMeta {
                    name_or_index: NameOrIndex::Index(index),
                    ty,
                    source_start: self.cursor,
                    source_len,
                    parent: self.parent,
                    prev: self.prev,
                    next: None,
                    expanded: false,
                };
                self.state = ParsingState::InArray { index: index + 1 };
                meta
            },
            _ => ObjectMeta {
                name_or_index: NameOrIndex::Index(0),
                ty,
                source_start: self.cursor,
                source_len,
                parent: self.parent,
                prev: self.prev,
                next: None,
                expanded: true,
            },
        }
    }

    fn push_object_meta(&mut self, meta: ObjectMeta) -> (r: Option<JsonMetadataIndex>)
        ensures
            r is Some <==> spec_push(old(self)@, meta) is Some,
            r matches Some(ni) ==> (ni, final(self)@) == spec_push(old(self)@, meta)->0,
    {
        if self.output.list.len() > u32::MAX as usize {
            return None;
        }
        let old_len = self.output.list.len();
        if let Some(prev) = self.prev {
            if prev.get() >= old_len {
                return None;
            }
        }
        let new_index = self.output.push(meta);
        if let Some(prev) = self.prev {
            let mut pm = self.output.list[prev.get()];
            pm.next = Some(new_index);
            self.output.list.set(prev.get(), pm);
        }
        self.prev = Some(new_index);
        Some(new_index)
    }

    fn add_object_meta(&mut self, ty: ObjectType, source_len: usize) -> (r: Option<
        JsonMetadataIndex,
    >)
        ensures
            r is Some <==> spec_add(old(self)@, ty, source_len) is Some,
            r matches Some(ni) ==> (ni, final(self)@) == spec_add(old(self)@, ty, source_len)->0,
    {
        if !self.can_create() {
            return None;
        }
        let meta = self.create_object_meta(ty, source_len);
        self.push_object_meta(meta)
    }
}

impl ParsingContext {
    fn read_scalar(&mut self, content: &[u8], ty: ObjectType, len: usize) -> (ok: bool)
        requires
            old(self)@.cursor + len <= usize::MAX,
        ensures
            ok <==> spec_scalar(content@, old(self)@, ty, len as int) is Some,
            ok ==> final(self)@ == spec_scalar(content@, old(self)@, ty, len as int)->0,
    {
        let start = self.cursor;
        match self.add_object_meta(ty, len) {
            None => false,
            Some(_) => match after_value_exec(content, start + len) {
                None => false,
                Some(k) => {
                    self.cursor = k;
                    true
                },
            },
        }
    }

    fn read_open(&mut self, content: &[u8], is_array: bool) -> (ok: bool)
        requires
            old(self)@.cursor < content@.len(),
        ensures
            ok <==> spec_open(content@, old(self)@, is_array) is Some,
            ok ==> final(self)@ == spec_open(content@, old(self)@, is_array)->0,
    {
        let start = self.cursor;
        let n = content.len();
        assert(start < n);
        let ty = if is_array {
            ObjectType::EmptyArray
        } else {
            ObjectType::EmptyStructure
        };
        match self.add_object_meta(ty, 0) {
            None => false,
            Some(new_index) => match skip_whitespace(content, start + 1) {
                None => false,
                Some(k) => {
                    self.parent = Some(new_index);
                    self.prev = None;
                    self.state = if is_array {
                        ParsingState::InArray { index: 0 }
                    } else {
                        ParsingState::InStructWithoutName
                    };
                    self.cursor = k;
                    true
                },
            },
        }
    }

    fn read_close(&mut self, content: &[u8]) -> (ok: bool)
        requires
            old(self)@.cursor < content@.len(),
        ensures
            ok <==> spec_close(content@, old(self)@) is Some,
            ok ==> final(self)@ == spec_close(content@, old(self)@)->0,
    {
        let n = content.len();
        assert(self.cursor < n);
        let k = self.cursor + 1;
        match self.parent {
            None => false,
            Some(p) => {
                if p.get() >= self.output.list.len() || self.output.list[p.get()].source_start > k {
                    return false;
                }
                let mut pm = self.output.list[p.get()];
                let new_state = match pm.name_or_index {
                    NameOrIndex::Name { .. } => ParsingState::InStructWithoutName,
                    NameOrIndex::Index(index) => {
                        if index == u64::MAX {
                            return false;
                        }
                        ParsingState::InArray { index: index + 1 }
                    },
                };
                pm.source_len = k - pm.source_start;
                self.output.list.set(p.get(), pm);
                self.state = new_state;
                self.prev = self.parent;
                self.parent = pm.parent;
                self.cursor = after_close_exec(content, k);
                true
            },
        }
    }

    fn read_quoted(&mut self, content: &[u8]) -> (ok: bool)
        requires
            old(self)@.cursor < content@.len(),
        ensures
            ok <==> spec_quoted(content@, old(self)@) is Some,
            ok ==> final(self)@ == spec_quoted(content@, old(self)@)->0,
    {
        let start = self.cursor;
        let n = content.len();
        assert(start < n);
        match escaped_len_at(content, start) {
            None => false,
            Some(len) => {
                proof {
                    lemma_escaped_scan_bound(content@, start + 1, false);
                }
                if matches!(self.state, ParsingState::InStructWithoutName) {
                    let k = start + len;
                    if len <= u32::MAX as usize && k < content.len() && content[k] == 0x3a {
                        match skip_whitespace(content, k + 1) {
                            None => false,
                            Some(k2) => {
                                self.state = ParsingState::InStructWithName {
                                    start,
                                    len: len as u32,
                                };
                                self.cursor = k2;
                                true
                            },
                        }
                    } else {
                        false
                    }
                } else {
                    self.read_scalar(content, ObjectType::String, len)
                }
            },
        }
    }

    fn read_literal(
        &mut self,
        content: &[u8],
        lit: &[u8],
        ty: ObjectType,
    ) -> (ok: bool)
        requires
            old(self)@.cursor < content@.len(),
        ensures
            ok <==> spec_literal(content@, old(self)@, lit@, ty) is Some,
            ok ==> final(self)@ == spec_literal(content@, old(self)@, lit@, ty)->0,
    {
        let start = self.cursor;
        let n = content.len();
        assert(start < n);
        if content.len() - start < lit.len() {
            return false;
        }
        let mut i: usize = 0;
        while i < lit.len()
            invariant
                0 <= i <= lit@.len(),
                n == content@.len(),
                start == old(self)@.cursor,
                start + lit@.len() <= content@.len(),
                forall|j: int| 0 <= j < i ==> content@[start + j] == lit@[j],
            decreases lit.len() - i,
        {
            if content[start + i] != lit[i] {
                assert(content@.subrange(start as int, start + lit@.len())[i as int]
                    != lit@[i as int]);
                assert(content@.subrange(start as int, start + lit@.len()) != lit@);
                return false;
            }
            i += 1;
        }
        assert(content@.subrange(start as int, start + lit@.len()) =~= lit@);
        self.read_scalar(content, ty, lit.len())
    }

    fn step(&mut self, content: &[u8]) -> (ok: bool)
        requires
            old(self)@.cursor < content@.len(),
        ensures
            ok <==> spec_step(content@, old(self)@) is Some,
            ok ==> final(self)@ == spec_step(content@, old(self)@)->0,
    {
        let b = content[self.cursor];
        if b == 0x5b {
            self.read_open(content, true)
        } else if b == 0x7b {
            self.read_open(content, false)
        } else if b == 0x5d || b == 0x7d {
            self.read_close(content)
        } else if b == 0x22 {
            self.read_quoted(content)
        } else if b == 0x2d || is_ascii_digit(b) {
            match number_length(content, self.cursor) {
                None => false,
                Some(n) => {
                    proof {
                        lemma_number_len_bound(content@, self.cursor as int);
                    }
                    self.read_scalar(content, ObjectType::Number, n)
                },
            }
        } else if b == 0x6e {
            let lit: [u8; 4] = [0x6e, 0x75, 0x6c, 0x6c];
            assert(lit@ =~= lit_null());
            self.read_literal(content, lit.as_slice(), ObjectType::Null)
        } else if b == 0x74 {
            let lit: [u8; 4] = [0x74, 0x72, 0x75, 0x65];
            assert(lit@ =~= lit_true());
            self.read_literal(content, lit.as_slice(), ObjectType::Bool)
        } else if b == 0x66 {
            let lit: [u8; 5] = [0x66, 0x61, 0x6c, 0x73, 0x65];
            assert(lit@ =~= lit_false());
            self.read_literal(content, lit.as_slice(), ObjectType::Bool)
        } else {
            false
        }
    }
}

/// A closed string ends after its opening quote and inside the input.
pub proof fn lemma_escaped_scan_bound(s: Seq<u8>, i: int, escaped: bool)
    ensures
        escaped_scan(s, i, escaped) matches Some(e) ==> i < e <= s.len() && s[e - 1] == 0x22,
    decreases s.len() - i,
{
    if 0 <= i < s.len() {
        if s[i] == 0x5c && !escaped {
            lemma_escaped_scan_bound(s, i + 1, true);
        } else if s[i] == 0x22 && !escaped {
        } else {
            lemma_escaped_scan_bound(s, i + 1, false);
        }
    }
}

pub proof fn lemma_digits_end_bound(c: Seq<u8>, i: int)
    ensures
        digits_end(c, i) matches Some(e) ==> i <= e < c.len() && forall|k: int|
            i <= k < e ==> is_digit(#[trigger] c[k]),
    decreases c.len() - i,
{
    if 0 <= i < c.len() && is_digit(c[i]) {
        lemma_digits_end_bound(c, i + 1);
    }
}

/// A number ends inside the input, at least one byte after its start.
pub proof fn lemma_number_len_bound(c: Seq<u8>, i: int)
    ensures
        number_len(c, i) matches Some(n) ==> 1 <= n && i + n < c.len() && (n == 1 || is_digit(
            c[i + n - 1],
        ) || c[i + n - 1] == 0x2e),
{
    lemma_digits_end_bound(c, i + 1);
    if let Some(e1) = digits_end(c, i + 1) {
        lemma_digits_end_bound(c, e1 + 1);
    }
}

pub proof fn lemma_skip_ws_strict_bound(c: Seq<u8>, i: int)
    ensures
        skip_ws_strict(c, i) matches Some(e) ==> i <= e < c.len(),
    decreases c.len() - i,
{
    if 0 <= i < c.len() && is_ws(c[i]) {
        lemma_skip_ws_strict_bound(c, i + 1);
    }
}

pub proof fn lemma_skip_ws_lenient_bound(c: Seq<u8>, i: int)
    requires
        0 <= i <= c.len(),
    ensures
        i <= skip_ws_lenient(c, i) <= c.len(),
    decreases c.len() - i,
{
    if 0 <= i < c.len() && is_ws(c[i]) {
        lemma_skip_ws_lenient_bound(c, i + 1);
    }
}

/// Each step that succeeds moves the cursor forward and not past the end.
pub proof fn lemma_step_advances(c: Seq<u8>, s: ParseState)
    requires
        0 <= s.cursor < c.len(),
    ensures
        spec_step(c, s) matches Some(s2) ==> s.cursor < s2.cursor <= c.len(),
{
    lemma_skip_ws_strict_bound(c, s.cursor + 1);
    lemma_skip_ws_lenient_bound(c, s.cursor + 1);
    if s.cursor + 2 <= c.len() {
        lemma_skip_ws_lenient_bound(c, s.cursor + 2);
    }
    lemma_escaped_scan_bound(c, s.cursor + 1, false);
    lemma_number_len_bound(c, s.cursor);
    if let Some(len) = spec_escaped_len_at(c, s.cursor) {
        lemma_skip_ws_strict_bound(c, s.cursor + len + 1);
        lemma_skip_ws_strict_bound(c, s.cursor + len);
    }
    if let Some(n) = number_len(c, s.cursor) {
        lemma_skip_ws_strict_bound(c, s.cursor + n + 1);
        lemma_skip_ws_strict_bound(c, s.cursor + n);
    }
    lemma_skip_ws_strict_bound(c, s.cursor + 4);
    lemma_skip_ws_strict_bound(c, s.cursor + 5);
    lemma_skip_ws_strict_bound(c, s.cursor + 6);
}

/// Reads JSON text into its metadata list; `None` on the inputs the reader
/// rejects (an unknown byte, an unclosed string, a key without a colon, a
/// value inside a structure without a key, a closing bracket with nothing
/// open, or input that ends where more is needed).
pub fn try_parse_json_structure(content: &[u8]) -> (r: Option<JsonMetadata>)
    ensures
        r is Some <==> spec_parse(content@) is Some,
        r matches Some(m) ==> spec_parse(content@) == Some(m@),
{
    let mut ctx = ParsingContext::new();
    loop
        invariant
            ctx@.cursor <= content@.len(),
            spec_run(content@, ctx@) == spec_run(content@, initial_state()),
        decreases content@.len() - ctx@.cursor,
    {
        if ctx.cursor == content.len() {
            return Some(ctx.output);
        }
        let ghost before = ctx@;
        proof {
            lemma_step_advances(content@, before);
        }
        if !ctx.step(content) {
            return None;
        }
    }
}

/// Reads JSON text the reader accepts into its metadata list. The list is a
/// well-formed forest whose values and keys lie in the input; when the input
/// starts with a bracket, the first entry is the root, children are numbered
/// or named, containers start with their bracket, and sources come in
/// document order.
pub fn parse_json_structure(content: &[u8]) -> (r: JsonMetadata)
    requires
        spec_parse(content@) is Some,
    ensures
        spec_parse(content@) == Some(r@),
        wf_list(r@),
        sources_in(content@, r@),
        starts_with_bracket(content@) ==> {
            &&& root_first(r@)
            &&& children_named(content@, r@)
            &&& containers_marked(content@, r@)
            &&& in_document_order(r@)
        },
{
    let n: usize = content.len();
    proof {
        assert(content@.len() == n);
        lemma_parse_wf(content@);
        if starts_with_bracket(content@) {
            lemma_parse_laws(content@);
        }
    }
    match try_parse_json_structure(content) {
        Some(m) => m,
        None => {
            assert(false);
            JsonMetadata { list: Vec::new() }
        },
    }
}

} // verus!
